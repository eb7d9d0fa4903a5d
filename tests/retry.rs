use zkcli::connect::{ConnectAction, ConnectRetry, MAX_CONNECT_ATTEMPTS, RETRY_DELAY_MS};

fn drive(available_from: u32) -> (u32, u64, bool) {
    let mut policy = ConnectRetry::new();
    let mut attempts = 0u32;
    let mut waited = 0u64;
    loop {
        attempts += 1;
        match policy.on_attempt(attempts > available_from) {
            ConnectAction::UseSession => return (attempts, waited, true),
            ConnectAction::RetryAfter(ms) => waited += ms,
            ConnectAction::GiveUp => return (attempts, waited, false),
        }
    }
}

#[test]
fn connects_on_fourth_attempt() {
    let (attempts, waited, connected) = drive(3);
    assert!(connected);
    assert_eq!(attempts, 4);
    assert_eq!(waited, 30);
    assert!(waited <= 40);
}

#[test]
fn connects_at_once() {
    assert_eq!(drive(0), (1, 0, true));
}

#[test]
fn gives_up_after_ten_attempts() {
    assert_eq!(drive(u32::MAX), (10, 90, false));
    assert_eq!(MAX_CONNECT_ATTEMPTS, 10);
    assert_eq!(RETRY_DELAY_MS, 10);
}

#[test]
fn last_allowed_attempt_still_connects() {
    assert_eq!(drive(9), (10, 90, true));
}
