use dlm::error::DlmError;
use dlm::retry::RetryPolicy;
use dlm::retry::Verdict;

fn transport() -> DlmError {
    DlmError::TransportError { message: "connection reset".to_string() }
}

fn delay_of(verdict: Verdict) -> u64 {
    match verdict {
        Verdict::Again { delay_millis, .. } => delay_millis,
        Verdict::GiveUp => panic!("no retry was granted"),
    }
}

#[test]
fn delays_grow_by_powers_of_the_base() {
    let mut policy = RetryPolicy::new(10, 3);
    assert_eq!(delay_of(policy.retry_handler(&transport(), "l")), 10);
    assert_eq!(delay_of(policy.retry_handler(&transport(), "l")), 100);
    assert_eq!(delay_of(policy.retry_handler(&transport(), "l")), 1000);
    let mut policy = RetryPolicy::new(2, 4);
    assert_eq!(delay_of(policy.retry_handler(&transport(), "l")), 2);
    assert_eq!(delay_of(policy.retry_handler(&transport(), "l")), 4);
    assert_eq!(delay_of(policy.retry_handler(&transport(), "l")), 8);
    assert_eq!(delay_of(policy.retry_handler(&transport(), "l")), 16);
}

#[test]
fn delays_saturate() {
    let mut policy = RetryPolicy::new(u64::MAX - 1, 3);
    assert_eq!(delay_of(policy.retry_handler(&transport(), "l")), u64::MAX - 1);
    assert_eq!(delay_of(policy.retry_handler(&transport(), "l")), u64::MAX);
    assert_eq!(delay_of(policy.retry_handler(&transport(), "l")), u64::MAX);
    let mut policy = RetryPolicy::new(1 << 32, 2);
    assert_eq!(delay_of(policy.retry_handler(&transport(), "l")), 1 << 32);
    assert_eq!(delay_of(policy.retry_handler(&transport(), "l")), u64::MAX);
}

#[test]
fn retry_is_announced() {
    let mut policy = RetryPolicy::new(1000, 1);
    assert_eq!(
        policy.retry_handler(&transport(), "https://example.com/a.zip"),
        Verdict::Again {
            delay_millis: 1000,
            log: "Scheduling retry for https://example.com/a.zip after error transport error: connection reset"
                .to_string(),
        }
    );
}

#[test]
fn schedule_of_m_attempts_makes_exactly_m_attempts() {
    for retries in 0usize..6 {
        let mut policy = RetryPolicy::new(2, retries);
        let mut attempts = 0;
        let last = loop {
            attempts += 1;
            let error = transport();
            match policy.retry_handler(&error, "https://example.com/a.zip") {
                Verdict::Again { .. } => {}
                Verdict::GiveUp => break error,
            }
        };
        assert_eq!(attempts, retries + 1);
        assert_eq!(last, transport());
    }
}

#[test]
fn cancellation_is_never_retried() {
    let mut policy = RetryPolicy::new(2, 5);
    assert_eq!(policy.retry_handler(&DlmError::ProgramInterrupted, "l"), Verdict::GiveUp);
    assert_eq!(delay_of(policy.retry_handler(&transport(), "l")), 2);
    assert_eq!(policy.retry_handler(&DlmError::ProgramInterrupted, "l"), Verdict::GiveUp);
    assert_eq!(delay_of(policy.retry_handler(&transport(), "l")), 4);
}

#[test]
fn network_failures_are_retried_and_local_ones_are_not() {
    let mut policy = RetryPolicy::new(2, 10);
    assert_eq!(delay_of(policy.retry_handler(&DlmError::TimedOut, "l")), 2);
    let status = DlmError::ResponseStatusNotSuccess { status_code: "503 Service Unavailable".into() };
    assert_eq!(delay_of(policy.retry_handler(&status, "l")), 4);
    let io = DlmError::IoError { message: "disk full".into() };
    assert_eq!(policy.retry_handler(&io, "l"), Verdict::GiveUp);
    let link = DlmError::UnresolvableLink { message: "".into() };
    assert_eq!(policy.retry_handler(&link, "l"), Verdict::GiveUp);
    assert_eq!(policy.retry_handler(&DlmError::EmptyInputFile, "l"), Verdict::GiveUp);
    assert_eq!(delay_of(policy.retry_handler(&transport(), "l")), 8);
}

#[test]
fn errors_describe_themselves() {
    assert_eq!(DlmError::ProgramInterrupted.describe(), "program interrupted");
    assert_eq!(DlmError::TimedOut.describe(), "timed out while waiting for data");
    assert_eq!(DlmError::EmptyInputFile.describe(), "input file is empty");
    assert_eq!(transport().describe(), "transport error: connection reset");
    assert_eq!(
        DlmError::IoError { message: "disk full".into() }.describe(),
        "I/O error: disk full"
    );
    assert_eq!(
        DlmError::UnresolvableLink { message: "x/".into() }.describe(),
        "unresolvable link: x/"
    );
    assert_eq!(
        DlmError::ResponseStatusNotSuccess { status_code: "404 Not Found".into() }.describe(),
        "response status not success: 404 Not Found"
    );
    assert!(transport().is_retryable());
    assert!(!DlmError::ProgramInterrupted.is_retryable());
    assert!(DlmError::ProgramInterrupted.is_interruption());
    assert!(!DlmError::TimedOut.is_interruption());
}
