use jobqueue::JobHandler;
use jobqueue::JobRecord;
use jobqueue::JobStatus;
use jobqueue::JobStore;
use jobqueue::Registry;
use jobqueue::RetryPolicy;
use jobqueue::StepOutcome;
use jobqueue::dispatch;
use jobqueue::worker_step;

struct EchoHandler;

impl JobHandler for EchoHandler {
    fn execute(&self, job: &JobRecord) -> Result<(), String> {
        if job.payload == "{\"n\": 1}" {
            Ok(())
        } else {
            Err(format!("unexpected payload: {}", job.payload))
        }
    }
}

/// Fails on attempts 1 and 2, succeeds from attempt 3 on.
struct FlakyHandler;

impl JobHandler for FlakyHandler {
    fn execute(&self, job: &JobRecord) -> Result<(), String> {
        if job.attempts <= 2 {
            Err(format!("flaky failure on attempt {}", job.attempts))
        } else {
            Ok(())
        }
    }
}

struct AlwaysFailHandler;

impl JobHandler for AlwaysFailHandler {
    fn execute(&self, job: &JobRecord) -> Result<(), String> {
        Err(format!("failed attempt {}", job.attempts))
    }
}

enum MultiHandler {
    Accept,
    Reject,
}

impl JobHandler for MultiHandler {
    fn execute(&self, _job: &JobRecord) -> Result<(), String> {
        match self {
            MultiHandler::Accept => Ok(()),
            MultiHandler::Reject => Err("rejected".to_string()),
        }
    }
}

#[test]
fn worker_is_idle_on_empty_store() {
    let mut s = JobStore::new();
    let reg: Registry<EchoHandler> = Registry::new();
    let p = RetryPolicy { max_attempts: 3, backoff_base: 10, backoff_cap: 100 };
    assert_eq!(worker_step(&mut s, &reg, &p, 0), StepOutcome::Idle);
}

#[test]
fn worker_is_idle_before_available_at() {
    let mut s = JobStore::new();
    s.insert("echo".to_string(), "{\"n\": 1}".to_string(), 0, 60).unwrap();
    let mut reg: Registry<EchoHandler> = Registry::new();
    reg.register("echo".to_string(), EchoHandler);
    let p = RetryPolicy { max_attempts: 3, backoff_base: 10, backoff_cap: 100 };
    assert_eq!(worker_step(&mut s, &reg, &p, 59), StepOutcome::Idle);
    assert_eq!(worker_step(&mut s, &reg, &p, 60), StepOutcome::Completed(1));
}

#[test]
fn echo_job_succeeds_on_first_attempt() {
    let mut s = JobStore::new();
    let mut reg: Registry<EchoHandler> = Registry::new();
    reg.register("echo".to_string(), EchoHandler);
    let p = RetryPolicy { max_attempts: 3, backoff_base: 10, backoff_cap: 100 };
    let id = dispatch(&mut s, "echo".to_string(), "{\"n\": 1}".to_string(), 0).unwrap();
    assert_eq!(worker_step(&mut s, &reg, &p, 0), StepOutcome::Completed(id));
    let rec = s.get(id).unwrap();
    assert_eq!(rec.status, JobStatus::Succeeded);
    assert_eq!(rec.attempts, 1);
    assert_eq!(rec.last_error, None);
    assert_eq!(worker_step(&mut s, &reg, &p, 1), StepOutcome::Idle);
}

#[test]
fn flaky_job_succeeds_on_third_attempt_with_backoff_gaps() {
    let mut s = JobStore::new();
    let mut reg: Registry<FlakyHandler> = Registry::new();
    reg.register("flaky".to_string(), FlakyHandler);
    let p = RetryPolicy { max_attempts: 5, backoff_base: 100, backoff_cap: 10000 };
    let id = dispatch(&mut s, "flaky".to_string(), "{}".to_string(), 0).unwrap();

    // Attempt 1 fails; the next try is one base delay away.
    assert_eq!(worker_step(&mut s, &reg, &p, 0), StepOutcome::Retried(id, 100));
    let rec = s.get(id).unwrap();
    assert_eq!(rec.status, JobStatus::Pending);
    assert_eq!(rec.attempts, 1);
    assert_eq!(rec.available_at, 100);
    assert_eq!(rec.last_error.as_deref(), Some("flaky failure on attempt 1"));

    // Not claimable before its backoff has elapsed.
    assert_eq!(worker_step(&mut s, &reg, &p, 50), StepOutcome::Idle);

    // Attempt 2 fails; the delay has doubled.
    assert_eq!(worker_step(&mut s, &reg, &p, 100), StepOutcome::Retried(id, 300));
    let rec = s.get(id).unwrap();
    assert_eq!(rec.attempts, 2);
    assert_eq!(rec.last_error.as_deref(), Some("flaky failure on attempt 2"));

    // Attempt 3 succeeds.
    assert_eq!(worker_step(&mut s, &reg, &p, 300), StepOutcome::Completed(id));
    let rec = s.get(id).unwrap();
    assert_eq!(rec.status, JobStatus::Succeeded);
    assert_eq!(rec.attempts, 3);
}

#[test]
fn unregistered_kind_follows_the_retry_path() {
    let mut s = JobStore::new();
    let reg: Registry<EchoHandler> = Registry::new();
    let p = RetryPolicy { max_attempts: 2, backoff_base: 10, backoff_cap: 100 };
    let id = dispatch(&mut s, "ghost".to_string(), "{}".to_string(), 0).unwrap();

    assert_eq!(worker_step(&mut s, &reg, &p, 0), StepOutcome::Retried(id, 10));
    let rec = s.get(id).unwrap();
    assert_eq!(rec.status, JobStatus::Pending);
    assert_eq!(rec.last_error.as_deref(), Some("unknown job kind"));

    assert_eq!(worker_step(&mut s, &reg, &p, 10), StepOutcome::Abandoned(id));
    let rec = s.get(id).unwrap();
    assert_eq!(rec.status, JobStatus::Abandoned);
    assert_eq!(rec.attempts, 2);
    assert_eq!(rec.last_error.as_deref(), Some("unknown job kind"));
}

#[test]
fn always_failing_job_is_abandoned_after_max_attempts() {
    let mut s = JobStore::new();
    let mut reg: Registry<AlwaysFailHandler> = Registry::new();
    reg.register("doomed".to_string(), AlwaysFailHandler);
    let p = RetryPolicy { max_attempts: 3, backoff_base: 5, backoff_cap: 100 };
    let id = dispatch(&mut s, "doomed".to_string(), "{}".to_string(), 0).unwrap();

    assert_eq!(worker_step(&mut s, &reg, &p, 0), StepOutcome::Retried(id, 5));
    assert_eq!(worker_step(&mut s, &reg, &p, 5), StepOutcome::Retried(id, 15));
    assert_eq!(worker_step(&mut s, &reg, &p, 15), StepOutcome::Abandoned(id));

    let rec = s.get(id).unwrap();
    assert_eq!(rec.status, JobStatus::Abandoned);
    assert_eq!(rec.attempts, 3);
    assert_eq!(rec.last_error.as_deref(), Some("failed attempt 3"));
    assert_eq!(worker_step(&mut s, &reg, &p, 100), StepOutcome::Idle);
}

#[test]
fn registry_dispatches_by_kind() {
    let mut s = JobStore::new();
    let mut reg: Registry<MultiHandler> = Registry::new();
    reg.register("good".to_string(), MultiHandler::Accept);
    reg.register("bad".to_string(), MultiHandler::Reject);
    let p = RetryPolicy { max_attempts: 1, backoff_base: 10, backoff_cap: 100 };
    let good = dispatch(&mut s, "good".to_string(), "1".to_string(), 0).unwrap();
    let bad = dispatch(&mut s, "bad".to_string(), "2".to_string(), 1).unwrap();

    assert_eq!(worker_step(&mut s, &reg, &p, 5), StepOutcome::Completed(good));
    assert_eq!(worker_step(&mut s, &reg, &p, 5), StepOutcome::Abandoned(bad));
    assert_eq!(s.get(good).unwrap().status, JobStatus::Succeeded);
    assert_eq!(s.get(bad).unwrap().status, JobStatus::Abandoned);
    assert_eq!(s.get(bad).unwrap().last_error.as_deref(), Some("rejected"));
}

#[test]
fn registry_first_registration_wins() {
    let mut s = JobStore::new();
    let mut reg: Registry<MultiHandler> = Registry::new();
    reg.register("k".to_string(), MultiHandler::Accept);
    reg.register("k".to_string(), MultiHandler::Reject);
    let p = RetryPolicy { max_attempts: 1, backoff_base: 10, backoff_cap: 100 };
    let id = dispatch(&mut s, "k".to_string(), "1".to_string(), 0).unwrap();
    assert_eq!(worker_step(&mut s, &reg, &p, 0), StepOutcome::Completed(id));
}
